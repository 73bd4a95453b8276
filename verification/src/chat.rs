use rand::rngs::ThreadRng;
use rand::Rng;
use vstd::prelude::*;
use vstd::string::*;

use crate::text::{first_line, first_two_lines, is_blank, is_blank_text, second_line};

verus! {

broadcast use vstd::string::group_string_axioms;

#[verifier::external_type_specification]
#[verifier::external_body]
pub struct ExThreadRng(ThreadRng);

/// A colour given by its red, green and blue components, fully opaque.
#[derive(Clone, Copy, Debug, PartialEq, Eq, Structural)]
pub struct Rgb {
    pub r: u8,
    pub g: u8,
    pub b: u8,
}

/// The texts of a list of strings.
pub open spec fn texts(v: Seq<String>) -> Seq<Seq<char>> {
    v.map_values(|s: String| s@)
}

pub open spec fn white() -> Rgb {
    Rgb { r: 255, g: 255, b: 255 }
}

pub open spec fn grey() -> Rgb {
    Rgb { r: 128, g: 128, b: 128 }
}

pub open spec fn red() -> Rgb {
    Rgb { r: 255, g: 0, b: 0 }
}

pub open spec fn pale_green() -> Rgb {
    Rgb { r: 127, g: 250, b: 133 }
}

pub open spec fn green() -> Rgb {
    Rgb { r: 0, g: 255, b: 0 }
}

pub open spec fn rose() -> Rgb {
    Rgb { r: 245, g: 66, b: 93 }
}

/// The user counter shown when the server sends none.
pub open spec fn missing_counter_text() -> Seq<char> {
    "Use the latest server else the user counter wont work!"@
}

/// How many new messages arrive between two unread-message notifications.
pub open spec fn notify_step() -> int {
    5
}

/// A fresh handle on the thread's random number generator.
///
/// Calls `rand::thread_rng`. What the generator will produce is chance: nothing is stated.
#[verifier::external_body]
fn new_thread_rng() -> (rng: ThreadRng) {
    rand::thread_rng()
}

/// A random index from `0` to `max`, both included.
///
/// Calls `Rng::gen_range` with the range `0..=max`. The source of rand samples uniformly
/// from the range and panics only on an empty range, which `0..=max` never is; the contract
/// claims the bounds, and nothing of the generator's state.
#[verifier::external_body]
fn random_index(rng: &mut ThreadRng, max: usize) -> (i: usize)
    ensures
        i <= max,
{
    rng.gen_range(0..=max)
}

/// The state of the chat window that its decisions read and write: focus and unread
/// tracking, the emoji button, the text being written, the connection panel, the status
/// line and the list of received messages.
pub struct TemplateApp {
    pub msg_len_already_backed: bool,
    pub has_focus: bool,
    pub back_up_messages_num: usize,
    pub ml_is_enabled: bool,
    pub emojiui_is_open: bool,
    pub random_generated: bool,
    pub randomeng: ThreadRng,
    pub random_emoji: String,
    pub emoji: Vec<String>,
    pub label: String,
    /// Whether a connection to a server is open.
    pub connected: bool,
    pub user_counter: String,
    pub color: Rgb,
    pub status: String,
    pub status_color: Rgb,
    pub msg_color: Rgb,
    pub settings_is_open: bool,
    pub connection_is_open: bool,
    pub messages: Vec<String>,
    pub username: String,
    pub ip: String,
}

/// The emoji that the emoji button shows at random.
pub open spec fn button_emoji() -> Seq<Seq<char>> {
    seq![
        "😐"@, "😍"@, "😉"@, "😈"@, "😇"@, "😆"@, "😅"@, "😄"@, "😃"@, "😂"@, "😁"@, "😀"@, "✡"@,
    ]
}

/// The emoji that the emoji button shows at random, as a list.
fn button_emoji_list() -> (list: Vec<String>)
    ensures
        texts(list@) == button_emoji(),
{
    let mut list: Vec<String> = Vec::new();
    list.push(String::from_str("😐"));
    list.push(String::from_str("😍"));
    list.push(String::from_str("😉"));
    list.push(String::from_str("😈"));
    list.push(String::from_str("😇"));
    list.push(String::from_str("😆"));
    list.push(String::from_str("😅"));
    list.push(String::from_str("😄"));
    list.push(String::from_str("😃"));
    list.push(String::from_str("😂"));
    list.push(String::from_str("😁"));
    list.push(String::from_str("😀"));
    list.push(String::from_str("✡"));
    assert(texts(list@) =~= button_emoji());
    list
}

impl Default for TemplateApp {
    fn default() -> (app: Self)
        ensures
            app.is_fresh(),
    {
        TemplateApp {
            has_focus: false,
            back_up_messages_num: 0,
            ml_is_enabled: false,
            msg_len_already_backed: false,
            emojiui_is_open: false,
            random_generated: false,
            randomeng: new_thread_rng(),
            emoji: button_emoji_list(),
            random_emoji: String::from_str("😐"),
            label: String::new(),
            connected: false,
            user_counter: String::from_str("0"),
            color: Rgb { r: 255, g: 255, b: 255 },
            status: String::from_str("Waiting for user"),
            status_color: Rgb { r: 128, g: 128, b: 128 },
            msg_color: Rgb { r: 255, g: 255, b: 255 },
            settings_is_open: false,
            connection_is_open: true,
            messages: Vec::new(),
            username: String::new(),
            ip: String::from_str("127.0.0.1:6000"),
        }
    }
}

/// The characters of the emoji button, one per emoji, in order.
pub open spec fn button_code_points() -> Seq<char> {
    seq![
        '\u{1F610}', '\u{1F60D}', '\u{1F609}', '\u{1F608}', '\u{1F607}', '\u{1F606}',
        '\u{1F605}', '\u{1F604}', '\u{1F603}', '\u{1F602}', '\u{1F601}', '\u{1F600}',
        '\u{2721}',
    ]
}

impl TemplateApp {
    /// Writing is enabled exactly while a connection is open.
    pub open spec fn writing_matches_connection(self) -> bool {
        self.ml_is_enabled == self.connected
    }

    /// The state of a window that has just opened: nothing received, not connected, the
    /// connection panel open, the status waiting for a user, and the settings that a first
    /// run starts with.
    pub open spec fn is_fresh(self) -> bool {
        &&& self.is_fresh_session()
        &&& texts(self.emoji@) == button_emoji()
        &&& self.random_emoji@ == "😐"@
        &&& self.color == white()
        &&& self.msg_color == white()
    }

    /// The part of a just-opened window that is not kept between runs.
    pub open spec fn is_fresh_session(self) -> bool {
        &&& !self.has_focus
        &&& self.back_up_messages_num == 0
        &&& !self.ml_is_enabled
        &&& !self.msg_len_already_backed
        &&& !self.emojiui_is_open
        &&& !self.random_generated
        &&& self.label@ == Seq::<char>::empty()
        &&& !self.connected
        &&& self.user_counter@ == "0"@
        &&& self.status@ == "Waiting for user"@
        &&& self.status_color == grey()
        &&& !self.settings_is_open
        &&& self.connection_is_open
        &&& self.messages@.len() == 0
        &&& self.username@ == Seq::<char>::empty()
        &&& self.ip@ == "127.0.0.1:6000"@
    }

    /// A window that has just opened with the settings kept from an earlier run: the
    /// emoji of the emoji button, the one it shows, and the colours of the text being
    /// written and of the messages.
    pub fn with_saved_settings(random_emoji: String, emoji: Vec<String>, color: Rgb, msg_color: Rgb) -> (app: Self)
        ensures
            app.is_fresh_session(),
            app.random_emoji == random_emoji,
            app.emoji == emoji,
            app.color == color,
            app.msg_color == msg_color,
    {
        let mut app = TemplateApp::default();
        app.random_emoji = random_emoji;
        app.emoji = emoji;
        app.color = color;
        app.msg_color = msg_color;
        app
    }

    /// In a window that has just opened, the emoji button picks among thirteen emoji, each a
    /// single character: U+1F610, U+1F60D, U+1F609, U+1F608, U+1F607, U+1F606, U+1F605,
    /// U+1F604, U+1F603, U+1F602, U+1F601, U+1F600 and U+2721, in that order; it shows
    /// U+1F610 first.
    pub proof fn lemma_fresh_button_emoji(self, i: int)
        requires
            self.is_fresh(),
            0 <= i < 13,
        ensures
            self.emoji@.len() == 13,
            self.emoji@[i]@ == seq![button_code_points()[i]],
            self.random_emoji@ == seq!['\u{1F610}'],
    {
        reveal_strlit("😐");
        reveal_strlit("😍");
        reveal_strlit("😉");
        reveal_strlit("😈");
        reveal_strlit("😇");
        reveal_strlit("😆");
        reveal_strlit("😅");
        reveal_strlit("😄");
        reveal_strlit("😃");
        reveal_strlit("😂");
        reveal_strlit("😁");
        reveal_strlit("😀");
        reveal_strlit("✡");
        assert(texts(self.emoji@).len() == self.emoji@.len());
        assert(button_emoji().len() == 13);
        assert(texts(self.emoji@)[i] == self.emoji@[i]@);
        assert(button_emoji()[i] =~= seq![button_code_points()[i]]);
        assert(self.random_emoji@ =~= seq!['\u{1F610}']);
    }

    /// In a window that has just opened, writing is disabled and no connection is open.
    pub proof fn lemma_fresh_writing_matches_connection(self)
        requires
            self.is_fresh(),
        ensures
            self.writing_matches_connection(),
            !self.connected,
    {
    }

    /// Notes whether the window has the focus. When it loses the focus, the number of
    /// messages received so far is remembered, once, as the count already read.
    pub fn observe_focus(&mut self, focused: bool)
        ensures
            old(self).writing_matches_connection() ==> final(self).writing_matches_connection(),
            *final(self) == (TemplateApp {
                has_focus: focused,
                msg_len_already_backed: !focused,
                back_up_messages_num: if !focused && !old(self).msg_len_already_backed {
                    old(self).messages@.len() as usize
                } else {
                    old(self).back_up_messages_num
                },
                ..*old(self)
            }),
    {
        self.has_focus = focused;
        if !self.has_focus && !self.msg_len_already_backed {
            self.back_up_messages_num = self.messages.len();
            self.msg_len_already_backed = true;
        }
        if self.has_focus {
            self.msg_len_already_backed = false;
        }
    }

    /// Whether to notify the user of unread messages: more than five messages arrived
    /// beyond the count already read. When so, that count moves on by five.
    pub fn take_unread_notification(&mut self) -> (notify: bool)
        ensures
            old(self).writing_matches_connection() ==> final(self).writing_matches_connection(),
            notify == (old(self).back_up_messages_num + notify_step() < old(self).messages@.len()),
            *final(self) == (TemplateApp {
                back_up_messages_num: if notify {
                    (old(self).back_up_messages_num + notify_step()) as usize
                } else {
                    old(self).back_up_messages_num
                },
                ..*old(self)
            }),
    {
        let len = self.messages.len();
        if len > 5 && self.back_up_messages_num < len - 5 {
            self.back_up_messages_num = self.back_up_messages_num + 5;
            true
        } else {
            false
        }
    }

    /// Takes in what the server sent. Unless it is blank, its first line joins the
    /// messages and its second line becomes the user counter (a notice where there is
    /// none). Returns whether anything changed.
    pub fn receive_message(&mut self, incoming: &str) -> (changed: bool)
        ensures
            old(self).writing_matches_connection() ==> final(self).writing_matches_connection(),
            changed == !is_blank(incoming@),
            changed ==> texts(final(self).messages@) == texts(old(self).messages@).push(
                first_line(incoming@),
            ),
            changed ==> final(self).user_counter@ == match second_line(incoming@) {
                Some(t) => t,
                None => missing_counter_text(),
            },
            !changed ==> *final(self) == *old(self),
            *final(self) == (TemplateApp {
                messages: final(self).messages,
                user_counter: final(self).user_counter,
                ..*old(self)
            }),
    {
        if is_blank_text(incoming) {
            return false;
        }
        let (first, second) = first_two_lines(incoming);
        let ghost before = self.messages@;
        self.messages.push(first);
        assert(texts(self.messages@) =~= texts(before).push(first_line(incoming@)));
        match second {
            Some(t) => {
                self.user_counter = t;
            },
            None => {
                self.user_counter = String::from_str(
                    "Use the latest server else the user counter wont work!",
                );
            },
        }
        true
    }

    /// The text being written is submitted: it is cleared, and where a connection is
    /// open, the text and the user name are handed back to be sent.
    pub fn submit_label(&mut self) -> (out: Option<(String, String)>)
        ensures
            old(self).writing_matches_connection() ==> final(self).writing_matches_connection(),
            out is Some <==> old(self).connected,
            out matches Some((text, author)) ==> text@ == old(self).label@ && author@ == old(self).username@,
            final(self).label@ == Seq::<char>::empty(),
            *final(self) == (TemplateApp { label: final(self).label, ..*old(self) }),
    {
        let out = if self.connected {
            Some((self.label.clone(), self.username.clone()))
        } else {
            None
        };
        self.label = String::new();
        out
    }

    /// The "Connect" button of the connection panel. Where a connection is open, or the
    /// user name is blank, the status says why nothing happens; otherwise the status says
    /// that a connection is being made and the address to dial is handed back.
    pub fn press_connect(&mut self) -> (dial: Option<String>)
        ensures
            old(self).writing_matches_connection() ==> final(self).writing_matches_connection(),
            dial is Some <==> !old(self).connected && !is_blank(old(self).username@),
            dial matches Some(address) ==> address@ == old(self).ip@,
            old(self).connected ==> final(self).status@ == "Connection already established"@
                && final(self).status_color == old(self).status_color,
            !old(self).connected && is_blank(old(self).username@) ==> final(self).status@
                == "You didnt enter a username!"@ && final(self).status_color == red(),
            dial is Some ==> final(self).status@ == "Connecting. . ."@ && final(self).status_color
                == pale_green(),
            *final(self) == (TemplateApp {
                status: final(self).status,
                status_color: final(self).status_color,
                ..*old(self)
            }),
    {
        if self.connected {
            self.status = String::from_str("Connection already established");
            None
        } else if is_blank_text(self.username.as_str()) {
            self.status = String::from_str("You didnt enter a username!");
            self.status_color = Rgb { r: 255, g: 0, b: 0 };
            None
        } else {
            self.status = String::from_str("Connecting. . .");
            self.status_color = Rgb { r: 127, g: 250, b: 133 };
            Some(self.ip.clone())
        }
    }

    /// The outcome of dialling the server. On success the window is connected, writing is
    /// enabled and the old messages are dropped; on failure the status says the address
    /// was wrong.
    pub fn finish_connect(&mut self, succeeded: bool)
        ensures
            old(self).writing_matches_connection() ==> final(self).writing_matches_connection(),
            succeeded ==> final(self).connected && final(self).ml_is_enabled && final(self).status@ == "Connected"@ && final(self).status_color == green()
                && final(self).messages@.len() == 0,
            !succeeded ==> final(self).status@ == "Invalid ip adress or port"@ && final(self).status_color == red() && final(self).messages == old(self).messages
                && final(self).connected == old(self).connected && final(self).ml_is_enabled
                == old(self).ml_is_enabled,
            *final(self) == (TemplateApp {
                connected: final(self).connected,
                ml_is_enabled: final(self).ml_is_enabled,
                status: final(self).status,
                status_color: final(self).status_color,
                messages: final(self).messages,
                ..*old(self)
            }),
    {
        if succeeded {
            self.connected = true;
            self.ml_is_enabled = true;
            self.status = String::from_str("Connected");
            self.status_color = Rgb { r: 0, g: 255, b: 0 };
            self.messages.clear();
        } else {
            self.status = String::from_str("Invalid ip adress or port");
            self.status_color = Rgb { r: 255, g: 0, b: 0 };
        }
    }

    /// The "Disconnect" button of the connection panel. Where a connection is open, it is
    /// to be shut down (the result says so), writing is disabled and the status says so;
    /// otherwise the status says that there is no connection.
    pub fn press_disconnect(&mut self) -> (shut_down: bool)
        ensures
            old(self).writing_matches_connection() ==> final(self).writing_matches_connection(),
            shut_down == old(self).connected,
            shut_down ==> !final(self).connected && !final(self).ml_is_enabled && final(self).status@ == "Disconected"@ && final(self).status_color == red(),
            !shut_down ==> final(self).status@ == "Connection doesnt exist"@ && final(self).status_color == old(self).status_color && final(self).ml_is_enabled == old(self).ml_is_enabled,
            !final(self).connected,
            *final(self) == (TemplateApp {
                connected: final(self).connected,
                ml_is_enabled: final(self).ml_is_enabled,
                status: final(self).status,
                status_color: final(self).status_color,
                ..*old(self)
            }),
    {
        if self.connected {
            self.connected = false;
            self.ml_is_enabled = false;
            self.status = String::from_str("Disconected");
            self.status_color = Rgb { r: 255, g: 0, b: 0 };
            true
        } else {
            self.status = String::from_str("Connection doesnt exist");
            false
        }
    }

    /// The line at the top of the window: a request to connect while writing is disabled,
    /// the number of connected users otherwise.
    pub fn header_text(&self) -> (text: String)
        ensures
            !self.ml_is_enabled ==> text@ == "Connect to a chat server to write messages!"@,
            self.ml_is_enabled ==> text@ == "Connected users: "@ + self.user_counter@,
    {
        if !self.ml_is_enabled {
            String::from_str("Connect to a chat server to write messages!")
        } else {
            String::from_str("Connected users: ").concat(self.user_counter.as_str())
        }
    }

    /// The pointer is over the emoji button, or not. The first time it comes over the
    /// button, the button picks one of its emoji at random; when it leaves, the next visit
    /// picks again.
    pub fn hover_emoji_button(&mut self, hovered: bool)
        requires
            hovered && !old(self).random_generated ==> old(self).emoji@.len() > 0,
        ensures
            old(self).writing_matches_connection() ==> final(self).writing_matches_connection(),
            hovered && !old(self).random_generated ==> final(self).random_generated && exists|i: int|
                0 <= i < old(self).emoji@.len() && final(self).random_emoji == #[trigger] old(self).emoji@[i],
            hovered && !old(self).random_generated ==> *final(self) == (TemplateApp {
                random_emoji: final(self).random_emoji,
                random_generated: true,
                randomeng: final(self).randomeng,
                ..*old(self)
            }),
            !hovered ==> *final(self) == (TemplateApp { random_generated: false, ..*old(self) }),
            hovered && old(self).random_generated ==> *final(self) == *old(self),
    {
        if hovered {
            if !self.random_generated {
                let i = random_index(&mut self.randomeng, self.emoji.len() - 1);
                self.random_emoji = self.emoji[i].clone();
                self.random_generated = true;
            }
        } else {
            self.random_generated = false;
        }
    }

    /// The emoji button was clicked: the emoji panel opens, or closes where it was open.
    pub fn toggle_emoji_panel(&mut self)
        ensures
            old(self).writing_matches_connection() ==> final(self).writing_matches_connection(),
            *final(self) == (TemplateApp {
                emojiui_is_open: !old(self).emojiui_is_open,
                ..*old(self)
            }),
    {
        self.emojiui_is_open = !self.emojiui_is_open;
    }

    /// An emoji picked in the emoji panel is appended to the text being written, while the
    /// panel is open.
    pub fn insert_emoji(&mut self, picked: &str)
        ensures
            old(self).writing_matches_connection() ==> final(self).writing_matches_connection(),
            old(self).emojiui_is_open ==> final(self).label@ == old(self).label@ + picked@,
            !old(self).emojiui_is_open ==> final(self).label == old(self).label,
            *final(self) == (TemplateApp { label: final(self).label, ..*old(self) }),
    {
        if self.emojiui_is_open {
            self.label.append(picked);
        }
    }
}

} // verus!
